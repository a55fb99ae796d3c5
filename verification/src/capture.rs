//! Packaging of a display snapshot: the captured pixels are encoded as a
//! PNG, the PNG as base64 text, and the text is returned with the image's
//! dimensions and a fresh timestamp. Nothing is kept between requests.
//!
//! Acquiring the pixels is the capture provider's work and happens before
//! this module is called.

use vstd::prelude::*;
use vstd::string::StringExecFns;
use crate::error::{CommandError, CommandErrorView};
use crate::host::{
    base64_encode,
    base64_fits,
    base64_standard,
    image_error_text,
    png_encode,
    png_rgba8,
    utc_now_rfc3339,
};

verus! {

/// What the capture provider hands over: 8-bit RGBA pixels, row after row.
#[derive(Debug, PartialEq, Eq)]
pub struct Frame {
    pub pixels: Vec<u8>,
    pub width: u32,
    pub height: u32,
}

/// An encoded snapshot as it is returned to the caller.
#[derive(Debug, PartialEq, Eq)]
pub struct ScreenshotResponse {
    /// The PNG image as base64 text.
    pub image_data: String,
    pub width: u32,
    pub height: u32,
    /// When the snapshot was packaged, as an RFC 3339 string.
    pub timestamp: String,
}

/// The mathematical content of a [`ScreenshotResponse`].
pub struct ScreenshotView {
    pub image_data: Seq<char>,
    pub width: u32,
    pub height: u32,
    pub timestamp: Seq<char>,
}

impl View for ScreenshotResponse {
    type V = ScreenshotView;

    open spec fn view(&self) -> ScreenshotView {
        ScreenshotView {
            image_data: self.image_data@,
            width: self.width,
            height: self.height,
            timestamp: self.timestamp@,
        }
    }
}

/// Whether a pixel buffer of length `len` holds exactly the four bytes of
/// every pixel of a `width` by `height` image.
pub open spec fn frame_is_whole(len: nat, width: u32, height: u32) -> bool {
    len == 4 * (width * height)
}

/// The detail reported for a frame whose buffer does not match its
/// dimensions.
pub open spec fn broken_frame_detail() -> Seq<char> {
    "el búfer de píxeles no corresponde a las dimensiones"@
}

/// The detail reported for a frame without width or without height.
pub open spec fn empty_frame_detail() -> Seq<char> {
    "la imagen no tiene píxeles"@
}

/// The detail reported for an image too large to be written as text.
pub open spec fn oversized_image_detail() -> Seq<char> {
    "la imagen codificada es demasiado grande"@
}

impl Frame {
    /// Whether the buffer holds exactly the pixels of the stated dimensions.
    pub fn is_whole(&self) -> (whole: bool)
        ensures
            whole == frame_is_whole(self.pixels@.len(), self.width, self.height),
    {
        assert(self.width * self.height <= 0xFFFF_FFFF * 0xFFFF_FFFF) by (nonlinear_arith)
            requires
                0 <= self.width <= 0xFFFF_FFFF,
                0 <= self.height <= 0xFFFF_FFFF,
        ;
        let pixels: u64 = (self.width as u64) * (self.height as u64);
        self.pixels.len() as u128 == 4 * (pixels as u128)
    }
}

/// The response for an encoded image: the bytes as base64 text with the
/// dimensions and the timestamp as given, or a failure for an image so
/// large that its text could not be addressed.
pub open spec fn packaged(png: Seq<u8>, width: u32, height: u32, timestamp: Seq<char>) -> Result<
    ScreenshotView,
    CommandErrorView,
> {
    if base64_fits(png.len()) {
        Ok(ScreenshotView { image_data: base64_standard(png), width, height, timestamp })
    } else {
        Err(CommandErrorView::EncodingFailure { detail: oversized_image_detail() })
    }
}

/// The answer of the capture command for what the image encoder answered:
/// its image packaged, or its words as the detail of an encoding failure.
pub open spec fn answered(
    encoded: Result<Seq<u8>, Seq<char>>,
    width: u32,
    height: u32,
    timestamp: Seq<char>,
) -> Result<ScreenshotView, CommandErrorView> {
    match encoded {
        Ok(png) => packaged(png, width, height, timestamp),
        Err(detail) => Err(CommandErrorView::EncodingFailure { detail }),
    }
}

/// The mathematical content of what a capture answers.
pub open spec fn answer_view(outcome: Result<ScreenshotResponse, CommandError>) -> Result<
    ScreenshotView,
    CommandErrorView,
> {
    match outcome {
        Ok(shot) => Ok(shot@),
        Err(error) => Err(error@),
    }
}

/// Packages an encoded image: the bytes become base64 text, and the
/// dimensions and the timestamp are passed on as they are.
///
/// Fails only for an image so large that its text could not be addressed.
pub fn screenshot_response(png: &Vec<u8>, width: u32, height: u32, timestamp: String) -> (outcome:
    Result<ScreenshotResponse, CommandError>)
    ensures
        answer_view(outcome) == packaged(png@, width, height, timestamp@),
{
    if png.len() / 3 >= usize::MAX / 4 {
        return Err(
            CommandError::EncodingFailure {
                detail: String::from_str("la imagen codificada es demasiado grande"),
            },
        );
    }
    Ok(ScreenshotResponse { image_data: base64_encode(png), width, height, timestamp })
}

/// Answers a capture from what the image encoder answered: an image is
/// packaged with the dimensions and the timestamp given, and a failure is
/// passed on as an `EncodingFailure` that carries the encoder's words.
pub fn encoded_screenshot(
    encoded: Result<Vec<u8>, String>,
    width: u32,
    height: u32,
    timestamp: String,
) -> (outcome: Result<ScreenshotResponse, CommandError>)
    ensures
        answer_view(outcome) == answered(
            match encoded {
                Ok(png) => Ok(png@),
                Err(detail) => Err(detail@),
            },
            width,
            height,
            timestamp@,
        ),
{
    match encoded {
        Ok(png) => screenshot_response(&png, width, height, timestamp),
        Err(detail) => Err(CommandError::EncodingFailure { detail }),
    }
}

/// What the capture command answers for a frame that it does not hand to
/// the image encoder: none for a frame that is whole and has pixels.
pub open spec fn refused_frame(len: nat, width: u32, height: u32) -> Option<CommandErrorView> {
    if !frame_is_whole(len, width, height) {
        Some(CommandErrorView::EncodingFailure { detail: broken_frame_detail() })
    } else if width == 0 || height == 0 {
        Some(CommandErrorView::EncodingFailure { detail: empty_frame_detail() })
    } else {
        None
    }
}

/// The capture command. `frame` is what the capture provider produced,
/// `None` where it could not produce an image.
///
/// Without a frame the command fails with `CaptureUnavailable`. A frame
/// whose buffer does not match its dimensions, or that has no width or no
/// height, is never encoded and fails with `EncodingFailure`. Every other
/// frame is encoded as a PNG and answered with the base64 text of exactly
/// that image, the frame's dimensions and the current time; the one
/// failure left is an image too large for its text to be addressed.
pub fn capture_screen(frame: Option<Frame>) -> (outcome: Result<ScreenshotResponse, CommandError>)
    ensures
        match frame {
            None => outcome matches Err(error) && error@ == CommandErrorView::CaptureUnavailable,
            Some(frame) => match refused_frame(frame.pixels@.len(), frame.width, frame.height) {
                Some(refusal) => outcome matches Err(error) && error@ == refusal,
                None => {
                    let png = png_rgba8(frame.pixels@, frame.width, frame.height);
                    match outcome {
                        Ok(shot) => {
                            &&& base64_fits(png.len())
                            &&& shot.width == frame.width
                            &&& shot.height == frame.height
                            &&& shot.image_data@ == base64_standard(png)
                        },
                        Err(error) => {
                            &&& !base64_fits(png.len())
                            &&& error@ == (CommandErrorView::EncodingFailure {
                                detail: oversized_image_detail(),
                            })
                        },
                    }
                },
            },
        },
{
    let frame = match frame {
        Some(frame) => frame,
        None => {
            return Err(CommandError::CaptureUnavailable);
        },
    };
    if !frame.is_whole() {
        return Err(
            CommandError::EncodingFailure {
                detail: String::from_str("el búfer de píxeles no corresponde a las dimensiones"),
            },
        );
    }
    if frame.width == 0 || frame.height == 0 {
        return Err(
            CommandError::EncodingFailure {
                detail: String::from_str("la imagen no tiene píxeles"),
            },
        );
    }
    let encoded = match png_encode(&frame.pixels, frame.width, frame.height) {
        Ok(png) => Ok(png),
        Err(error) => Err(image_error_text(&error)),
    };
    encoded_screenshot(encoded, frame.width, frame.height, utc_now_rfc3339())
}

} // verus!
