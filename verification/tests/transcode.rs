use image::GenericImageView;
use image_compressor::compress_image;
use image_compressor::init;
use image_compressor::parse_format;
use image_compressor::str_eq;
use image_compressor::CompressError;
use image_compressor::OutputFormat;
use image_compressor::Phase;

const PNG_MAGIC: [u8; 8] = [0x89, b'P', b'N', b'G', 0x0D, 0x0A, 0x1A, 0x0A];
const JPEG_MAGIC: [u8; 3] = [0xFF, 0xD8, 0xFF];

fn encode(img: &image::DynamicImage, format: image::ImageOutputFormat) -> Vec<u8> {
    let mut out = std::io::Cursor::new(Vec::new());
    img.write_to(&mut out, format).unwrap();
    out.into_inner()
}

/// A small smooth gradient image.
fn gradient_image() -> image::DynamicImage {
    image::DynamicImage::ImageRgb8(image::RgbImage::from_fn(48, 32, |x, y| {
        image::Rgb([(x * 5) as u8, (y * 7) as u8, ((x + y) * 3) as u8])
    }))
}

/// A deterministic high-detail image, standing in for a photograph: every
/// pixel is a mixed function of its coordinates, so the JPEG encoder has
/// real detail to trade against quality.
fn noisy_image() -> image::DynamicImage {
    image::DynamicImage::ImageRgb8(image::RgbImage::from_fn(64, 64, |x, y| {
        let mut v: u32 = x.wrapping_mul(0x9E37_79B9).wrapping_add(y.wrapping_mul(0x85EB_CA6B));
        v ^= v >> 15;
        v = v.wrapping_mul(0x2C1B_3C6D);
        v ^= v >> 12;
        image::Rgb([(v & 0xFF) as u8, ((v >> 8) & 0xFF) as u8, ((v >> 16) & 0xFF) as u8])
    }))
}

fn sample_png() -> Vec<u8> {
    encode(&gradient_image(), image::ImageOutputFormat::Png)
}

fn sample_jpeg() -> Vec<u8> {
    encode(&gradient_image(), image::ImageOutputFormat::Jpeg(90))
}

fn noisy_png() -> Vec<u8> {
    encode(&noisy_image(), image::ImageOutputFormat::Png)
}

#[test]
fn round_trip_png_input_to_png() {
    let data = sample_png();
    let out = compress_image(&data, 80, "png").unwrap();
    assert!(!out.is_empty());
    assert_eq!(&out[0..8], &PNG_MAGIC);
    let reparsed = image::load_from_memory(&out).unwrap();
    let original = image::load_from_memory(&data).unwrap();
    assert_eq!(reparsed.dimensions(), original.dimensions());
}

#[test]
fn round_trip_png_input_to_jpeg() {
    let data = sample_png();
    let out = compress_image(&data, 80, "jpeg").unwrap();
    assert!(!out.is_empty());
    assert_eq!(&out[0..3], &JPEG_MAGIC);
    let reparsed = image::load_from_memory(&out).unwrap();
    let original = image::load_from_memory(&data).unwrap();
    assert_eq!(reparsed.dimensions(), original.dimensions());
}

#[test]
fn round_trip_jpeg_input_to_png() {
    let data = sample_jpeg();
    let out = compress_image(&data, 80, "png").unwrap();
    assert!(!out.is_empty());
    assert_eq!(&out[0..8], &PNG_MAGIC);
    let reparsed = image::load_from_memory(&out).unwrap();
    let original = image::load_from_memory(&data).unwrap();
    assert_eq!(reparsed.dimensions(), original.dimensions());
}

#[test]
fn round_trip_jpeg_input_to_jpeg() {
    let data = sample_jpeg();
    let out = compress_image(&data, 80, "jpeg").unwrap();
    assert!(!out.is_empty());
    assert_eq!(&out[0..3], &JPEG_MAGIC);
    let reparsed = image::load_from_memory(&out).unwrap();
    let original = image::load_from_memory(&data).unwrap();
    assert_eq!(reparsed.dimensions(), original.dimensions());
}

#[test]
fn png_output_is_insensitive_to_quality() {
    let data = sample_png();
    let low = compress_image(&data, 1, "png").unwrap();
    let high = compress_image(&data, 100, "png").unwrap();
    assert_eq!(low, high);
}

#[test]
fn jpeg_output_is_sensitive_to_quality() {
    let data = noisy_png();
    let low = compress_image(&data, 5, "jpeg").unwrap();
    let high = compress_image(&data, 95, "jpeg").unwrap();
    assert_ne!(low, high);
    let low_fb = compress_image(&data, 5, "bogus").unwrap();
    let high_fb = compress_image(&data, 95, "bogus").unwrap();
    assert_ne!(low_fb, high_fb);
}

#[test]
fn unknown_tokens_fall_back_to_jpeg() {
    let data = sample_png();
    let reference = compress_image(&data, 60, "jpeg").unwrap();
    let tokens = ["jpg", "", "bogus", "PNG", "pgn"];
    for token in tokens {
        let out = compress_image(&data, 60, token).unwrap();
        assert_eq!(out, reference);
        assert_eq!(&out[0..3], &JPEG_MAGIC);
    }
}

#[test]
fn decode_failure_on_empty_input() {
    let err = compress_image(&[], 80, "png").unwrap_err();
    assert_eq!(err.phase, Phase::Load);
    assert!(err.message().starts_with("Failed to load image"));
}

#[test]
fn decode_failure_on_garbage_input() {
    let garbage: Vec<u8> = vec![0x13, 0x37, 0x00, 0xAB, 0xCD, 0xEF, 0x42, 0x99];
    let err = compress_image(&garbage, 80, "jpeg").unwrap_err();
    assert_eq!(err.phase, Phase::Load);
    assert!(err.message().starts_with("Failed to load image"));
}

#[test]
fn decode_failure_on_truncated_input() {
    let mut data = sample_png();
    data.truncate(12);
    let err = compress_image(&data, 80, "png").unwrap_err();
    assert_eq!(err.phase, Phase::Load);
    assert!(err.message().starts_with("Failed to load image"));
}

#[test]
fn quality_extremes_are_ordered_on_photographic_input() {
    let data = noisy_png();
    let low = compress_image(&data, 1, "jpeg").unwrap();
    let high = compress_image(&data, 100, "jpeg").unwrap();
    assert!(high.len() >= low.len());
}

#[test]
fn init_twice_is_harmless() {
    init();
    init();
}

#[test]
fn no_cross_call_state_leakage() {
    let a = sample_png();
    let b = sample_jpeg();
    let isolated = compress_image(&a, 70, "jpeg").unwrap();
    let _ = compress_image(&b, 20, "png").unwrap();
    let after_other_call = compress_image(&a, 70, "jpeg").unwrap();
    assert_eq!(isolated, after_other_call);
}

#[test]
fn error_messages_name_their_phase() {
    let cases = [
        (Phase::Load, "Failed to load image: boom"),
        (Phase::JpegEncode, "JPEG compression failed: boom"),
        (Phase::PngEncode, "PNG compression failed: boom"),
        (Phase::FallbackEncode, "Compression failed: boom"),
    ];
    for (phase, expected) in cases {
        let err = CompressError { phase, cause: String::from("boom") };
        assert_eq!(err.message(), expected);
    }
}

#[test]
fn parse_format_dispatch() {
    assert_eq!(parse_format("jpeg"), OutputFormat::Jpeg);
    assert_eq!(parse_format("jpg"), OutputFormat::Jpeg);
    assert_eq!(parse_format("png"), OutputFormat::Png);
    assert_eq!(parse_format(""), OutputFormat::Fallback);
    assert_eq!(parse_format("PNG"), OutputFormat::Fallback);
    assert_eq!(parse_format("bogus"), OutputFormat::Fallback);
    assert_eq!(parse_format("jpegg"), OutputFormat::Fallback);
}

#[test]
fn str_eq_decides_equality() {
    assert!(str_eq("", ""));
    assert!(str_eq("png", "png"));
    assert!(!str_eq("png", "PNG"));
    assert!(!str_eq("jpeg", "jpg"));
    assert!(!str_eq("jpg", "jpgx"));
    assert!(!str_eq("jpgx", "jpg"));
}
