//! Re-encoding one image file's bytes: the format is detected from the
//! content's magic bytes, never from the file's name; a JPEG is re-encoded
//! as JPEG at the requested quality, a PNG as PNG at the strongest lossless
//! setting, and anything else is refused with the file left untouched.

use vstd::prelude::*;

use crate::stats::CompressionStats;
use image::ImageEncoder;

verus! {

/// The image format detected from a buffer's magic bytes.
#[derive(Clone, Copy, PartialEq, Eq, Structural, Debug)]
pub enum FormatTag {
    /// A JPEG signature.
    Jpeg,
    /// A PNG signature.
    Png,
    /// A recognised signature of some other image format.
    Other,
    /// No recognised signature at all.
    Unknown,
}

/// Which encoder path a detected format is dispatched to.
#[derive(Clone, Copy, PartialEq, Eq, Structural, Debug)]
pub enum EncoderChoice {
    Jpeg,
    Png,
    Unsupported,
}

/// Why re-encoding one file failed.  Every failure is per-file: the caller
/// logs it and carries on with the next file.
#[derive(Debug)]
pub enum CompressError {
    /// The buffer starts with no recognised image signature.
    FormatUnknown,
    /// The buffer holds a recognised format that is neither JPEG nor PNG.
    UnsupportedFormat,
    /// The buffer's format was recognised but its content did not decode.
    DecodeFailed(String),
    /// The decoded image could not be re-encoded.
    EncodeFailed(String),
}

/// The reason text of a failure, as the log shows it: a fixed sentence for
/// each variant, with the decoder's or encoder's own message appended
/// where one was carried.
pub open spec fn spec_describe(e: CompressError) -> Seq<char> {
    match e {
        CompressError::FormatUnknown => "could not determine the image format"@,
        CompressError::UnsupportedFormat => "re-encoding this image format is not supported"@,
        CompressError::DecodeFailed(msg) => "could not decode the image: "@ + msg@,
        CompressError::EncodeFailed(msg) => "could not re-encode the image: "@ + msg@,
    }
}

impl CompressError {
    /// The reason text for the failure log line.
    pub fn describe(&self) -> (r: String)
        ensures
            r@ == spec_describe(*self),
    {
        match self {
            CompressError::FormatUnknown => String::from_str(
                "could not determine the image format",
            ),
            CompressError::UnsupportedFormat => String::from_str(
                "re-encoding this image format is not supported",
            ),
            CompressError::DecodeFailed(msg) => {
                let mut s = String::from_str("could not decode the image: ");
                s.append(msg.as_str());
                s
            },
            CompressError::EncodeFailed(msg) => {
                let mut s = String::from_str("could not re-encode the image: ");
                s.append(msg.as_str());
                s
            },
        }
    }
}

/// What re-encoding one file produced: the new encoded bytes, the format
/// they are in, and the before/after sizes.
pub struct CompressionOutcome {
    pub data: Vec<u8>,
    pub format: FormatTag,
    pub stats: CompressionStats,
}

/// The format that `image::guess_format` reads from a buffer's magic
/// bytes, folded onto the tags this library dispatches on.  The guess is a
/// function of the bytes alone.
pub uninterp spec fn format_tag_of(data: Seq<u8>) -> FormatTag;

#[verifier::external_type_specification]
#[verifier::external_body]
pub struct ExDynamicImage(image::DynamicImage);

/// Relies on `image::guess_format`: it reads only the magic bytes at the
/// start of the buffer, returning `ImageFormat::Png` for a PNG signature,
/// `ImageFormat::Jpeg` for a JPEG signature, another format's tag for any
/// other recognised signature, and an error for an unrecognised one.
#[verifier::external_body]
fn detect_format(data: &Vec<u8>) -> (r: FormatTag)
    ensures
        r == format_tag_of(data@),
{
    match image::guess_format(data) {
        Ok(image::ImageFormat::Jpeg) => FormatTag::Jpeg,
        Ok(image::ImageFormat::Png) => FormatTag::Png,
        Ok(_) => FormatTag::Other,
        Err(_) => FormatTag::Unknown,
    }
}

/// Relies on `image::ImageReader`: `with_guessed_format` reads the
/// signature (infallibly from an in-memory cursor), `decode` decodes with
/// the format so found, and `no_limits` removes the default decoding
/// limits.  The reader consults the image crate's process-global,
/// run-time-mutable hook registries before its built-in format table, so
/// nothing is claimed of when decoding succeeds: the caller states what
/// holds of every outcome.  A failure is handed back as the error's
/// display text.
#[verifier::external_body]
fn decode_image(data: &Vec<u8>) -> (r: Result<image::DynamicImage, String>) {
    let mut reader = image::ImageReader::new(std::io::Cursor::new(data.as_slice()));
    reader.no_limits();
    match reader.with_guessed_format() {
        Ok(ready) => match ready.decode() {
            Ok(img) => Ok(img),
            Err(e) => Err(format!("{e}")),
        },
        Err(e) => Err(format!("{e}")),
    }
}

/// Relies on `image::codecs::jpeg::JpegEncoder`: `new_with_quality` clamps
/// the quality into 1..=100, and `encode_image` writes the re-encoded JPEG
/// into the in-memory buffer, failing (for instance on a zero-sized image)
/// rather than panicking.  A successful stream begins with the JPEG start
/// marker bytes FF D8 FF, which `image::guess_format` reads as JPEG.
#[verifier::external_body]
fn encode_jpeg(img: &image::DynamicImage, quality: u8) -> (r: Result<Vec<u8>, String>)
    ensures
        r matches Ok(bytes) ==> format_tag_of(bytes@) == FormatTag::Jpeg,
{
    let mut cursor = std::io::Cursor::new(Vec::new());
    let mut encoder = image::codecs::jpeg::JpegEncoder::new_with_quality(&mut cursor, quality);
    match encoder.encode_image(img) {
        Ok(()) => Ok(cursor.into_inner()),
        Err(e) => Err(format!("{e}")),
    }
}

/// Relies on `image::DynamicImage::to_rgba8` and
/// `image::codecs::png::PngEncoder`: the image is flattened to RGBA8 and
/// written back as PNG with `CompressionType::Best` and
/// `FilterType::Adaptive`, the strongest lossless setting with adaptive
/// filtering; the quality parameter plays no part in lossless re-encoding.
/// A successful stream begins with the eight-byte PNG signature, which
/// `image::guess_format` reads as PNG.
#[verifier::external_body]
fn encode_png(img: &image::DynamicImage) -> (r: Result<Vec<u8>, String>)
    ensures
        r matches Ok(bytes) ==> format_tag_of(bytes@) == FormatTag::Png,
{
    let rgba = img.to_rgba8();
    let (width, height) = rgba.dimensions();
    let mut cursor = std::io::Cursor::new(Vec::new());
    let encoder = image::codecs::png::PngEncoder::new_with_quality(
        &mut cursor,
        image::codecs::png::CompressionType::Best,
        image::codecs::png::FilterType::Adaptive,
    );
    match encoder.write_image(rgba.as_raw(), width, height, image::ExtendedColorType::Rgba8) {
        Ok(()) => Ok(cursor.into_inner()),
        Err(e) => Err(format!("{e}")),
    }
}

/// Which encoder a detected format selects: JPEG and PNG each to their own
/// encoder, everything else refused.
pub open spec fn spec_encoder_for(tag: FormatTag) -> EncoderChoice {
    match tag {
        FormatTag::Jpeg => EncoderChoice::Jpeg,
        FormatTag::Png => EncoderChoice::Png,
        FormatTag::Other => EncoderChoice::Unsupported,
        FormatTag::Unknown => EncoderChoice::Unsupported,
    }
}

/// Select the encoder for a detected format.
pub fn encoder_for(tag: FormatTag) -> (r: EncoderChoice)
    ensures
        r == spec_encoder_for(tag),
{
    match tag {
        FormatTag::Jpeg => EncoderChoice::Jpeg,
        FormatTag::Png => EncoderChoice::Png,
        FormatTag::Other => EncoderChoice::Unsupported,
        FormatTag::Unknown => EncoderChoice::Unsupported,
    }
}

/// Encoder selection is derived from the detected format alone, never from
/// a file's extension: the JPEG encoder is selected exactly for a detected
/// JPEG, the PNG encoder exactly for a detected PNG, and every other
/// detection outcome is refused, so no image of a non-JPEG detected format
/// can reach the JPEG encoder path.
pub proof fn lemma_encoder_choice_is_format_derived(tag: FormatTag)
    ensures
        spec_encoder_for(tag) == EncoderChoice::Jpeg <==> tag == FormatTag::Jpeg,
        spec_encoder_for(tag) == EncoderChoice::Png <==> tag == FormatTag::Png,
        spec_encoder_for(tag) == EncoderChoice::Unsupported <==> (tag == FormatTag::Other || tag
            == FormatTag::Unknown),
{
}

/// Re-encode one image file's bytes at the given quality.  The format is
/// detected from the content; a JPEG is re-encoded as JPEG at that quality
/// (raised to at least 1), a PNG as PNG at the strongest lossless setting,
/// and any other content is refused with the matching error.  On success
/// the outcome carries the new bytes -- themselves bearing the detected
/// format's signature -- and the exact before/after sizes.
pub fn compress_image(data: &Vec<u8>, quality: u8) -> (r: Result<
    CompressionOutcome,
    CompressError,
>)
    ensures
        ({
            let tag = format_tag_of(data@);
            &&& (r matches Err(CompressError::FormatUnknown) <==> tag == FormatTag::Unknown)
            &&& (r matches Err(CompressError::UnsupportedFormat) <==> tag == FormatTag::Other)
            &&& ((tag == FormatTag::Jpeg || tag == FormatTag::Png) ==> (r matches Ok(_)
                || r matches Err(CompressError::DecodeFailed(_)) || r matches Err(
                CompressError::EncodeFailed(_),
            )))
            &&& (r is Ok ==> (tag == FormatTag::Jpeg || tag == FormatTag::Png))
            &&& (r matches Ok(o) ==> o.format == tag && spec_encoder_for(o.format)
                != EncoderChoice::Unsupported && o.stats.original_size == data@.len()
                && o.stats.new_size == o.data@.len() && format_tag_of(o.data@) == o.format)
        }),
{
    let tag = detect_format(data);
    match encoder_for(tag) {
        EncoderChoice::Unsupported => {
            if tag == FormatTag::Unknown {
                Err(CompressError::FormatUnknown)
            } else {
                Err(CompressError::UnsupportedFormat)
            }
        },
        EncoderChoice::Jpeg => {
            match decode_image(data) {
                Err(msg) => Err(CompressError::DecodeFailed(msg)),
                Ok(img) => {
                    let q = if quality < 1 {
                        1
                    } else {
                        quality
                    };
                    match encode_jpeg(&img, q) {
                        Err(msg) => Err(CompressError::EncodeFailed(msg)),
                        Ok(bytes) => {
                            let stats = CompressionStats {
                                original_size: data.len() as u64,
                                new_size: bytes.len() as u64,
                            };
                            Ok(CompressionOutcome { data: bytes, format: tag, stats })
                        },
                    }
                },
            }
        },
        EncoderChoice::Png => {
            match decode_image(data) {
                Err(msg) => Err(CompressError::DecodeFailed(msg)),
                Ok(img) => {
                    match encode_png(&img) {
                        Err(msg) => Err(CompressError::EncodeFailed(msg)),
                        Ok(bytes) => {
                            let stats = CompressionStats {
                                original_size: data.len() as u64,
                                new_size: bytes.len() as u64,
                            };
                            Ok(CompressionOutcome { data: bytes, format: tag, stats })
                        },
                    }
                },
            }
        },
    }
}

} // verus!
