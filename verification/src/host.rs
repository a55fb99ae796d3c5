//! The few things this library has from outside: fresh session
//! identifiers, the current time, PNG encoding and base64 encoding.
//!
//! Every function here is a thin call into another crate. Their contracts
//! are believed, not proved; each doc comment says what is claimed and of
//! which function.

use vstd::prelude::*;
use base64::Engine;

verus! {

/// The base64 text of `bytes` in the standard alphabet with padding, as
/// `base64::engine::general_purpose::STANDARD` encodes it.
pub uninterp spec fn base64_standard(bytes: Seq<u8>) -> Seq<char>;

/// The PNG file that the `image` crate writes for an 8-bit RGBA image of
/// `width` by `height` pixels whose rows are laid out one after another in
/// `pixels`.
pub uninterp spec fn png_rgba8(pixels: Seq<u8>, width: u32, height: u32) -> Seq<u8>;

/// The error type of the `image` crate. Nothing is known of its values.
#[verifier::external_type_specification]
#[verifier::external_body]
pub struct ExImageError(image::ImageError);

/// Whether the base64 text of `len` bytes has a length that fits in
/// `usize`: four characters for every three bytes, the last group padded.
pub open spec fn base64_fits(len: nat) -> bool {
    (len / 3 + 1) * 4 <= usize::MAX
}

/// A random version-4 UUID in its hyphenated lower-case form, from
/// `uuid::Uuid::new_v4`.
///
/// Nothing is claimed of the result: it is random, and two calls may in
/// principle return the same text. The call panics if the operating system
/// cannot supply random bytes.
#[verifier::external_body]
pub(crate) fn random_uuid() -> (id: String) {
    uuid::Uuid::new_v4().to_string()
}

/// The current UTC time as an RFC 3339 string, from `chrono::Utc::now` and
/// `DateTime::to_rfc3339`.
///
/// Nothing is claimed of the result. The call panics if the system clock
/// stands before the Unix epoch.
#[verifier::external_body]
pub(crate) fn utc_now_rfc3339() -> (stamp: String) {
    chrono::Utc::now().to_rfc3339()
}

/// `Engine::encode` of `base64::engine::general_purpose::STANDARD`.
///
/// Claimed: the result is the encoding of exactly the given bytes. The
/// call panics when the length of the text overflows `usize`, which the
/// precondition excludes.
#[verifier::external_body]
pub(crate) fn base64_encode(bytes: &Vec<u8>) -> (text: String)
    requires
        base64_fits(bytes@.len()),
    ensures
        text@ == base64_standard(bytes@),
{
    base64::engine::general_purpose::STANDARD.encode(bytes)
}

/// `image::write_buffer_with_format` for an 8-bit RGBA buffer and the PNG
/// format, writing into memory.
///
/// Claimed: the call succeeds exactly for an image that has both width and
/// height, and on success the bytes written are the PNG of exactly the
/// given pixels and dimensions. Writing to memory cannot fail, and for a
/// buffer of the required length the encoder refuses nothing but a width or
/// a height of zero. The call panics when the buffer's length is not four
/// bytes per pixel, which the precondition excludes.
#[verifier::external_body]
pub(crate) fn png_encode(pixels: &Vec<u8>, width: u32, height: u32) -> (encoded: Result<
    Vec<u8>,
    image::ImageError,
>)
    requires
        pixels@.len() == 4 * (width * height),
    ensures
        (encoded is Ok) == (width != 0 && height != 0),
        encoded matches Ok(png) ==> png@ == png_rgba8(pixels@, width, height),
{
    let mut png: Vec<u8> = Vec::new();
    image::write_buffer_with_format(
        &mut std::io::Cursor::new(&mut png),
        pixels,
        width,
        height,
        image::ColorType::Rgba8,
        image::ImageFormat::Png,
    )?;
    Ok(png)
}

/// The `Display` text of an `image::ImageError`. Nothing is claimed of it.
#[verifier::external_body]
pub(crate) fn image_error_text(error: &image::ImageError) -> (text: String) {
    error.to_string()
}

} // verus!
