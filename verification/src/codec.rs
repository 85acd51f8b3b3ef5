//! Trusted boundary to the `image` crate's decoder and encoders, and to
//! the process-wide diagnostic hook.
//!
//! A decoded image is carried through as an opaque `image::DynamicImage`;
//! what the encoders read of it — its pixel samples, dimensions and
//! colour layout — is abstracted as `image_repr`. Decoding and encoding
//! are deterministic in their inputs, so their results are named as
//! functions of the input bytes, the image representation and the
//! quality parameter; no contract here says what those functions are on
//! given values.

use vstd::prelude::*;

verus! {

/// Declares `image::DynamicImage` so that a decoded image can stand in
/// signatures; the verifier sees nothing inside a value of it, and the
/// value is only carried from the decoder to an encoder.
#[verifier::external_type_specification]
#[verifier::external_body]
pub struct ExDynamicImage(image::DynamicImage);

/// The complete in-memory state of a decoded image that the encoders
/// read: its pixel samples together with its dimensions and colour
/// layout.
pub uninterp spec fn image_repr(img: image::DynamicImage) -> Seq<u8>;

/// What `image::load_from_memory` returns for a byte sequence: the
/// representation of the decoded image, or the parser's diagnostic text.
pub uninterp spec fn load_result(data: Seq<u8>) -> Result<Seq<u8>, Seq<char>>;

/// What the JPEG encoder returns for an image representation and a
/// quality parameter: the encoded bytes, or the encoder's diagnostic
/// text.
pub uninterp spec fn jpeg_encoding(repr: Seq<u8>, quality: u8) -> Result<Seq<u8>, Seq<char>>;

/// What the PNG encoder returns for an image representation: the encoded
/// bytes, or the encoder's diagnostic text. PNG encoding takes no
/// quality parameter.
pub uninterp spec fn png_encoding(repr: Seq<u8>) -> Result<Seq<u8>, Seq<char>>;

/// Relies on `image::load_from_memory`: detects the container format
/// from the bytes alone and decodes them into an in-memory image;
/// deterministic in the input bytes.
#[verifier::external_body]
pub(crate) fn load_image(data: &[u8]) -> (r: Result<image::DynamicImage, String>)
    ensures
        (r is Ok) == (load_result(data@) is Ok),
        r matches Ok(img) ==> image_repr(img) == load_result(data@)->Ok_0,
        r matches Err(m) ==> m@ == load_result(data@)->Err_0,
{
    match image::load_from_memory(data) {
        Ok(img) => Ok(img),
        Err(e) => Err(format!("{}", e)),
    }
}

/// Relies on `image::DynamicImage::write_to` with
/// `image::ImageOutputFormat::Jpeg`: encodes the image's pixel samples,
/// dimensions and colour layout as JPEG at the given quality into an
/// in-memory buffer; deterministic in the image's state and the quality.
#[verifier::external_body]
pub(crate) fn encode_jpeg(img: &image::DynamicImage, quality: u8) -> (r: Result<Vec<u8>, String>)
    ensures
        (r is Ok) == (jpeg_encoding(image_repr(*img), quality) is Ok),
        r matches Ok(out) ==> out@ == jpeg_encoding(image_repr(*img), quality)->Ok_0,
        r matches Err(m) ==> m@ == jpeg_encoding(image_repr(*img), quality)->Err_0,
{
    let mut out = std::io::Cursor::new(Vec::new());
    match img.write_to(&mut out, image::ImageOutputFormat::Jpeg(quality)) {
        Ok(()) => Ok(out.into_inner()),
        Err(e) => Err(format!("{}", e)),
    }
}

/// Relies on `image::DynamicImage::write_to` with
/// `image::ImageOutputFormat::Png`: encodes the image's pixel samples,
/// dimensions and colour layout as PNG into an in-memory buffer;
/// deterministic in the image's state.
#[verifier::external_body]
pub(crate) fn encode_png(img: &image::DynamicImage) -> (r: Result<Vec<u8>, String>)
    ensures
        (r is Ok) == (png_encoding(image_repr(*img)) is Ok),
        r matches Ok(out) ==> out@ == png_encoding(image_repr(*img))->Ok_0,
        r matches Err(m) ==> m@ == png_encoding(image_repr(*img))->Err_0,
{
    let mut out = std::io::Cursor::new(Vec::new());
    match img.write_to(&mut out, image::ImageOutputFormat::Png) {
        Ok(()) => Ok(out.into_inner()),
        Err(e) => Err(format!("{}", e)),
    }
}

/// Relies on `console_error_panic_hook::set_once`: installs the
/// diagnostic panic-reporting hook at most once per process; further
/// calls have no effect, so initialization is idempotent.
#[verifier::external_body]
pub fn init() {
    console_error_panic_hook::set_once();
}

} // verus!
