use image_compressor::codec::{compress_image, CompressError, FormatTag};
use image_compressor::stats::RunTotals;

fn sample_png_bytes() -> Vec<u8> {
    let img = image::RgbaImage::from_fn(16, 16, |x, y| {
        image::Rgba([(x * 16) as u8, (y * 16) as u8, 128, 255])
    });
    let mut cursor = std::io::Cursor::new(Vec::new());
    img.write_to(&mut cursor, image::ImageFormat::Png).unwrap();
    cursor.into_inner()
}

fn sample_jpeg_bytes() -> Vec<u8> {
    let img = image::RgbImage::from_fn(16, 16, |x, y| {
        image::Rgb([(x * 16) as u8, (y * 16) as u8, 200])
    });
    let mut cursor = std::io::Cursor::new(Vec::new());
    img.write_to(&mut cursor, image::ImageFormat::Jpeg).unwrap();
    cursor.into_inner()
}

#[test]
fn png_input_is_reencoded_as_png() {
    let bytes = sample_png_bytes();
    let outcome = compress_image(&bytes, 80).unwrap();
    assert_eq!(outcome.format, FormatTag::Png);
    assert_eq!(outcome.stats.original_size, bytes.len() as u64);
    assert_eq!(outcome.stats.new_size, outcome.data.len() as u64);
    let png_magic: [u8; 8] = [0x89, 0x50, 0x4E, 0x47, 0x0D, 0x0A, 0x1A, 0x0A];
    assert_eq!(&outcome.data[..8], &png_magic);
}

#[test]
fn jpeg_input_is_reencoded_as_jpeg() {
    let bytes = sample_jpeg_bytes();
    let outcome = compress_image(&bytes, 40).unwrap();
    assert_eq!(outcome.format, FormatTag::Jpeg);
    assert_eq!(outcome.stats.original_size, bytes.len() as u64);
    assert_eq!(outcome.stats.new_size, outcome.data.len() as u64);
    assert_eq!(&outcome.data[..3], &[0xFF, 0xD8, 0xFF]);
}

#[test]
fn encoder_selection_follows_the_content_not_a_name() {
    // JPEG bytes keep coming out as JPEG however often they go round, and
    // PNG bytes as PNG: the encoder path is derived from the detected
    // format of the content alone.
    let jpeg = compress_image(&sample_jpeg_bytes(), 90).unwrap();
    let again = compress_image(&jpeg.data, 90).unwrap();
    assert_eq!(again.format, FormatTag::Jpeg);
    let png = compress_image(&sample_png_bytes(), 90).unwrap();
    let again = compress_image(&png.data, 90).unwrap();
    assert_eq!(again.format, FormatTag::Png);
}

#[test]
fn quality_zero_is_raised_to_one() {
    let bytes = sample_jpeg_bytes();
    let outcome = compress_image(&bytes, 0).unwrap();
    assert_eq!(outcome.format, FormatTag::Jpeg);
}

#[test]
fn unrecognised_bytes_give_a_format_unknown_error() {
    let bytes = vec![0u8; 16];
    assert!(matches!(compress_image(&bytes, 80), Err(CompressError::FormatUnknown)));
}

#[test]
fn a_recognised_non_image_target_format_is_refused() {
    let mut bytes = b"GIF89a".to_vec();
    bytes.extend_from_slice(&[0u8; 32]);
    assert!(matches!(compress_image(&bytes, 80), Err(CompressError::UnsupportedFormat)));
}

#[test]
fn truncated_png_gives_a_decode_error() {
    let mut bytes = sample_png_bytes();
    bytes.truncate(20);
    assert!(matches!(compress_image(&bytes, 80), Err(CompressError::DecodeFailed(_))));
}

#[test]
fn each_error_variant_describes_itself() {
    assert_eq!(
        CompressError::FormatUnknown.describe(),
        "could not determine the image format"
    );
    assert_eq!(
        CompressError::UnsupportedFormat.describe(),
        "re-encoding this image format is not supported"
    );
    assert_eq!(
        CompressError::DecodeFailed(String::from("bad header")).describe(),
        "could not decode the image: bad header"
    );
    assert_eq!(
        CompressError::EncodeFailed(String::from("too wide")).describe(),
        "could not re-encode the image: too wide"
    );
}

#[test]
fn a_decode_failure_does_not_disturb_the_saved_total() {
    let mut totals = RunTotals::new(2);
    let good = sample_png_bytes();
    let outcome = compress_image(&good, 80).unwrap();
    totals.record_success(&outcome.stats);
    let saved_before = totals.saved;

    let mut corrupt = sample_png_bytes();
    corrupt.truncate(20);
    match compress_image(&corrupt, 80) {
        Err(CompressError::DecodeFailed(_)) => totals.record_failure(),
        other => panic!("expected a decode failure, got {:?}", other.map(|o| o.format)),
    }
    assert_eq!(totals.saved, saved_before);
    assert_eq!(totals.processed, 2);
}
