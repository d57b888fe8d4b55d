//! Recompression of JPEG and PNG images in place: scan a folder for image
//! files by extension, re-encode each at a chosen quality, and report the
//! per-file and aggregate savings.

pub mod codec;
pub mod render;
pub mod scanner;
pub mod stats;

pub use scanner::is_supported_image;
