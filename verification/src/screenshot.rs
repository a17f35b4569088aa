//! The screenshot utility: turn what the display edge captured into a
//! `data:image/png;base64,` URI for the UI layer.
//!
//! Reading the displays is edge work: the host side enumerates them,
//! captures the first one, and reports what happened as a [`CaptureOutcome`]
//! of plain values. Everything after that point is verified — mapping each
//! failed outcome to its error, sizing the buffer, framing the URI — with
//! the two encodings done by outside crates behind trusted wrappers.

use vstd::prelude::*;
use vstd::string::StringExecFns;

use crate::error::CommandError;

verus! {

/// The PNG stream that the image crate's PNG encoder writes for an RGBA8
/// frame of the given dimensions; a function of the frame alone.
pub uninterp spec fn png_bytes_of(width: u32, height: u32, rgba: Seq<u8>) -> Seq<u8>;

/// The standard-alphabet, padded base64 rendering of a byte string; a
/// function of the bytes alone.
pub uninterp spec fn base64_standard_of(bytes: Seq<u8>) -> Seq<char>;

/// The data URI that carries a captured RGBA8 frame to the UI layer.
pub open spec fn png_data_uri(width: u32, height: u32, rgba: Seq<u8>) -> Seq<char> {
    "data:image/png;base64,"@ + base64_standard_of(png_bytes_of(width, height, rgba))
}

/// What the display edge reports back from one capture attempt, as plain
/// values: the edge enumerates the displays, captures the first one, and
/// hands the result here. The library decides everything that follows for
/// every possible report.
#[derive(Debug, PartialEq, Eq)]
pub enum CaptureOutcome {
    /// Display enumeration failed; carries the enumerator's message.
    EnumerationFailed(String),
    /// Display enumeration reported no displays.
    NoDisplays,
    /// Capturing the first display failed; carries the capturer's message.
    CaptureFailed(String),
    /// The first display's frame: its dimensions and its RGBA8 pixels.
    Frame { width: u32, height: u32, rgba: Vec<u8> },
}

/// Relies on image's `PngEncoder` through `ImageEncoder::write_image`:
/// writing an RGBA8 frame whose buffer length matches its dimensions into
/// an in-memory cursor yields the PNG stream of that frame — a function of
/// the frame alone. The encoder panics only on a buffer-length mismatch,
/// which the precondition rules out; for this color type and an in-memory
/// sink it fails exactly when a dimension is zero (the png writer rejects
/// a zero width or height at the header, and nothing else on this path
/// can fail).
#[verifier::external_body]
fn encode_png(width: u32, height: u32, rgba: &Vec<u8>) -> (r: Result<Vec<u8>, CommandError>)
    requires
        rgba@.len() == 4 * width * height,
    ensures
        r is Ok ==> width > 0 && height > 0,
        r is Err ==> (width == 0 || height == 0),
        r matches Ok(b) ==> b@ == png_bytes_of(width, height, rgba@),
        r matches Err(e) ==> e matches CommandError::PngEncoding(_),
{
    let mut png_data: Vec<u8> = Vec::new();
    let mut cursor = std::io::Cursor::new(&mut png_data);
    let encoder = image::codecs::png::PngEncoder::new(&mut cursor);
    let outcome = image::ImageEncoder::write_image(
        encoder,
        rgba.as_slice(),
        width,
        height,
        image::ExtendedColorType::Rgba8,
    );
    match outcome {
        Ok(()) => Ok(png_data),
        Err(e) => Err(CommandError::PngEncoding(format!("{}", e))),
    }
}

/// Relies on base64's `Engine::encode` with the standard padded engine: the
/// returned text is a function of the input bytes alone. The engine panics
/// only when the output length overflows the address space, which the
/// precondition rules out.
#[verifier::external_body]
fn encode_base64(bytes: &Vec<u8>) -> (r: String)
    requires
        bytes@.len() <= usize::MAX / 4,
    ensures
        r@ == base64_standard_of(bytes@),
{
    base64::Engine::encode(&base64::engine::general_purpose::STANDARD, bytes)
}

/// How the encoding pipeline answers for one exact-size frame: success if
/// and only if both dimensions are nonzero and the PNG stream is small
/// enough to be base64-carried; the URI pinned on success; each error
/// pinned to its cause.
pub open spec fn frame_encoding_outcome(
    width: u32,
    height: u32,
    rgba: Seq<u8>,
    r: Result<String, CommandError>,
) -> bool {
    &&& (r is Ok <==> width > 0 && height > 0 && png_bytes_of(width, height, rgba).len()
        <= usize::MAX / 4)
    &&& (r matches Ok(s) ==> s@ == png_data_uri(width, height, rgba))
    &&& ((width == 0 || height == 0) ==> (r matches Err(e) && e
        matches CommandError::PngEncoding(_)))
    &&& (width > 0 && height > 0 ==> (r == Err::<String, CommandError>(
        CommandError::EncodedImageTooLarge,
    ) <==> png_bytes_of(width, height, rgba).len() > usize::MAX / 4))
    &&& (r matches Err(e) ==> (e matches CommandError::PngEncoding(_) || e
        == CommandError::EncodedImageTooLarge))
}

/// Encode one captured RGBA8 frame as a PNG data URI.
///
/// Succeeds exactly when both dimensions are nonzero and the PNG stream is
/// small enough to be base64-carried; the string is then exactly the URI
/// of the frame: the fixed `data:image/png;base64,` prefix followed by the
/// base64 rendering of the frame's PNG stream.
pub fn encode_frame(width: u32, height: u32, rgba: Vec<u8>) -> (r: Result<String, CommandError>)
    requires
        rgba@.len() == 4 * width * height,
    ensures
        frame_encoding_outcome(width, height, rgba@, r),
        r matches Ok(s) ==> s@.len() >= 22 && s@.subrange(0, 22) == "data:image/png;base64,"@,
{
    let png = match encode_png(width, height, &rgba) {
        Ok(b) => b,
        Err(e) => { return Err(e) },
    };
    if png.len() > usize::MAX / 4 {
        return Err(CommandError::EncodedImageTooLarge);
    }
    let b64 = encode_base64(&png);
    let uri = String::from_str("data:image/png;base64,").concat(b64.as_str());
    proof {
        reveal_strlit("data:image/png;base64,");
        assert(uri@.subrange(0, 22) =~= "data:image/png;base64,"@);
    }
    Ok(uri)
}

/// Decide the screenshot command's answer for what the display edge
/// reported: each failed outcome maps to its reported error, and a frame
/// becomes a PNG data URI. Fails — never panics — on every outcome; any
/// string returned starts with the `data:image/png;base64,` prefix.
///
/// A frame's buffer must cover its dimensions at four bytes per pixel: a
/// shorter buffer is reported as a capture failure, and any surplus beyond
/// the covered pixels is ignored, as the capture edge's own image type
/// treats it.
pub fn take_screenshot(outcome: CaptureOutcome) -> (r: Result<String, CommandError>)
    ensures
        outcome matches CaptureOutcome::EnumerationFailed(m) ==> r == Err::<String, CommandError>(
            CommandError::ScreenList(m),
        ),
        outcome == CaptureOutcome::NoDisplays ==> r == Err::<String, CommandError>(
            CommandError::NoScreensFound,
        ),
        outcome matches CaptureOutcome::CaptureFailed(m) ==> r == Err::<String, CommandError>(
            CommandError::ScreenCapture(m),
        ),
        outcome matches CaptureOutcome::Frame { width, height, rgba } ==> ({
            &&& rgba@.len() >= 4 * width * height ==> frame_encoding_outcome(
                width,
                height,
                rgba@.take(4 * width * height),
                r,
            )
            &&& rgba@.len() < 4 * width * height ==> (r matches Err(e) && e
                matches CommandError::ScreenCapture(_))
        }),
        r matches Ok(s) ==> s@.len() >= 22 && s@.subrange(0, 22) == "data:image/png;base64,"@,
{
    match outcome {
        CaptureOutcome::EnumerationFailed(m) => Err(CommandError::ScreenList(m)),
        CaptureOutcome::NoDisplays => Err(CommandError::NoScreensFound),
        CaptureOutcome::CaptureFailed(m) => Err(CommandError::ScreenCapture(m)),
        CaptureOutcome::Frame { width, height, mut rgba } => {
            proof {
                assert(4 * (width as int) * (height as int) <= 4 * 0xffff_ffff * 0xffff_ffff)
                    by (nonlinear_arith)
                    requires
                        width <= 0xffff_ffffu32,
                        height <= 0xffff_ffffu32,
                ;
            }
            let needed: u128 = 4u128 * (width as u128) * (height as u128);
            if (rgba.len() as u128) < needed {
                return Err(
                    CommandError::ScreenCapture(String::from_str("incomplete capture buffer")),
                );
            }
            let covered: usize = needed as usize;
            rgba.truncate(covered);
            encode_frame(width, height, rgba)
        },
    }
}

} // verus!
