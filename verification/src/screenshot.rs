//! Screenshot results.
//!
//! A captured region is written to a PNG file by the platform layer;
//! the result handed to the user interface carries the file's path,
//! its dimensions and size, and the image bytes encoded as base64
//! for an inline preview.

use vstd::prelude::*;

verus! {

/// The base64 encoding (standard alphabet, padded) of a byte
/// sequence. The encoding is a pure function of the bytes; its
/// character-level definition stays with the encoder.
pub uninterp spec fn base64_of(bytes: Seq<u8>) -> Seq<char>;

/// Relies on base64's standard engine: `Engine::encode` with the
/// standard alphabet and padding. The encoded length is four
/// characters per three input bytes, the last group padded to four.
#[verifier::external_body]
fn base64_encode(bytes: &[u8]) -> (r: String)
    requires
        bytes@.len() < 0x2000_0000_0000_0000,
    ensures
        r@ == base64_of(bytes@),
        bytes@.len() % 3 == 0 ==> r@.len() == bytes@.len() / 3 * 4,
        bytes@.len() % 3 != 0 ==> r@.len() == bytes@.len() / 3 * 4 + 4,
        bytes@.len() == 0 ==> r@.len() == 0,
{
    base64::Engine::encode(&base64::engine::general_purpose::STANDARD, bytes)
}

/// Result of a screenshot capture.
pub struct ScreenshotResult {
    /// Path of the written PNG file.
    pub path: String,
    /// Image width in pixels.
    pub width: usize,
    /// Image height in pixels.
    pub height: usize,
    /// Size of the file in bytes.
    pub file_size_bytes: u64,
    /// The file's bytes, base64 encoded for an inline preview.
    pub image_base64: String,
}

/// Assemble the screenshot result for the user interface: the
/// capture's metadata plus the preview encoding of the file bytes.
pub fn screenshot_result(
    path: String,
    width: usize,
    height: usize,
    file_size_bytes: u64,
    png_bytes: &[u8],
) -> (r: ScreenshotResult)
    requires
        png_bytes@.len() < 0x2000_0000_0000_0000,
    ensures
        r.path == path,
        r.width == width,
        r.height == height,
        r.file_size_bytes == file_size_bytes,
        r.image_base64@ == base64_of(png_bytes@),
        png_bytes@.len() % 3 == 0 ==> r.image_base64@.len() == png_bytes@.len() / 3 * 4,
        png_bytes@.len() % 3 != 0 ==> r.image_base64@.len() == png_bytes@.len() / 3 * 4 + 4,
{
    ScreenshotResult {
        path,
        width,
        height,
        file_size_bytes,
        image_base64: base64_encode(png_bytes),
    }
}

} // verus!
