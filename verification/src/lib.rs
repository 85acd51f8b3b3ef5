//! A single-call image transcoder: decode an encoded image from a byte
//! buffer and re-encode it into a requested container format with a
//! quality hint, returning the resulting bytes or a structured error.

mod codec;
mod error;
mod format;
mod transcode;

pub use codec::init;
pub use codec::image_repr;
pub use codec::jpeg_encoding;
pub use codec::load_result;
pub use codec::png_encoding;
pub use error::CompressError;
pub use error::Phase;
pub use error::lemma_load_message_prefix;
pub use error::lemma_message_extends_prefix;
pub use error::spec_message;
pub use error::spec_prefix;
pub use format::str_eq;
pub use format::parse_format;
pub use format::selector_of;
pub use format::OutputFormat;
pub use transcode::compress_image;
pub use transcode::lemma_decode_failure;
pub use transcode::lemma_dispatch_tokens;
pub use transcode::lemma_no_cross_call_state;
pub use transcode::lemma_non_png_tokens_agree;
pub use transcode::lemma_png_ignores_quality;
pub use transcode::transcode_spec;
