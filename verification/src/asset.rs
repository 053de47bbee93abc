use vstd::prelude::*;
use crate::error::InitError;

verus! {

/// Outcome of the host's asynchronous byte-fetch, as handed back to the
/// initializer: either the full response body with its HTTP status, or a
/// transport failure with nothing retrieved.
#[derive(Debug)]
pub enum FetchOutcome {
    Body { status: u16, bytes: Vec<u8> },
    Transport,
}

/// A decoded image: dimensions plus a tightly packed RGBA8 pixel buffer
/// (four bytes per pixel, row-major, no padding between rows).
#[derive(Debug)]
pub struct DecodedImage {
    pub width: u32,
    pub height: u32,
    pub pixels: Vec<u8>,
}

impl DecodedImage {
    /// Well-formed: non-degenerate dimensions, a row byte width that fits the
    /// GPU's 32-bit row stride, and a buffer that covers the full extent
    /// exactly.
    pub open spec fn wf(self) -> bool {
        &&& 1 <= self.width
        &&& 1 <= self.height
        &&& 4 * self.width <= u32::MAX
        &&& self.pixels@.len() == 4 * self.width * self.height
    }
}

/// An HTTP status that counts as success: only a 2xx response body is
/// accepted for decoding.
pub open spec fn spec_status_success(status: u16) -> bool {
    200 <= status < 300
}

/// Exec mirror of `spec_status_success`.
pub fn status_success(status: u16) -> (r: bool)
    ensures
        r == spec_status_success(status),
{
    200 <= status && status < 300
}

/// What the image decoder makes of a byte buffer: width, height and RGBA8
/// pixels, or nothing when the bytes are not a readable image. The format is
/// recognised from the fixed magic-byte table and decoded with the built-in
/// decoder for it, so the verdict depends on the bytes alone.
pub uninterp spec fn decoded_rgba_of(bytes: Seq<u8>) -> Option<(u32, u32, Seq<u8>)>;

/// Relies on `image::guess_format` (recognise the format from its fixed
/// magic-byte table), `image::load_from_memory_with_format` (decode with the
/// built-in decoder for that format; no runtime-registered hook is consulted
/// on this path) and `image::DynamicImage::to_rgba8` (convert to a tightly
/// packed RGBA8 buffer of exactly four bytes per pixel). Each depends on the
/// input bytes alone.
#[verifier::external_body]
fn decode_rgba(bytes: &Vec<u8>) -> (r: Option<DecodedImage>)
    ensures
        (match decoded_rgba_of(bytes@) {
            Option::Some((w, h, px)) => {
                &&& r matches Option::Some(img)
                &&& img.width == w
                &&& img.height == h
                &&& img.pixels@ == px
                &&& px.len() == 4 * w * h
            },
            Option::None => r is None,
        }),
{
    let format = match image::guess_format(bytes.as_slice()) {
        Ok(format) => format,
        Err(_) => return None,
    };
    match image::load_from_memory_with_format(bytes.as_slice(), format) {
        Ok(decoded) => {
            let rgba = decoded.to_rgba8();
            let width = rgba.width();
            let height = rgba.height();
            Some(DecodedImage { width, height, pixels: rgba.into_raw() })
        }
        Err(_) => None,
    }
}

/// The initializer's verdict on a fetch outcome: the image to upload, or
/// nothing when the transport failed, the status was not a success, the
/// bytes did not decode, or the decoded dimensions are degenerate or too
/// wide for a 32-bit row stride.
pub open spec fn spec_asset_accepted(outcome: FetchOutcome) -> Option<(u32, u32, Seq<u8>)> {
    match outcome {
        FetchOutcome::Transport => Option::None,
        FetchOutcome::Body { status, bytes } => {
            if !spec_status_success(status) {
                Option::None
            } else {
                match decoded_rgba_of(bytes@) {
                    Option::Some((w, h, px)) => {
                        if 1 <= w && 1 <= h && 4 * w <= u32::MAX {
                            Option::Some((w, h, px))
                        } else {
                            Option::None
                        }
                    },
                    Option::None => Option::None,
                }
            }
        },
    }
}

/// Apply the asset acceptance policy to a fetch outcome: check the status,
/// decode the body, and validate the decoded dimensions. Returns the image
/// to upload, or `InitError::Asset` exactly when `spec_asset_accepted`
/// rejects the outcome.
pub fn accept_asset(outcome: FetchOutcome) -> (r: Result<DecodedImage, InitError>)
    ensures
        (match spec_asset_accepted(outcome) {
            Option::Some((w, h, px)) => {
                &&& r matches Result::Ok(img)
                &&& img.width == w
                &&& img.height == h
                &&& img.pixels@ == px
                &&& img.wf()
            },
            Option::None => (r matches Result::Err(e) && e is Asset),
        }),
{
    match outcome {
        FetchOutcome::Transport => Err(InitError::Asset),
        FetchOutcome::Body { status, bytes } => {
            if !status_success(status) {
                Err(InitError::Asset)
            } else {
                match decode_rgba(&bytes) {
                    Option::Some(img) => {
                        if 1 <= img.width && 1 <= img.height && img.width <= u32::MAX / 4 {
                            Ok(img)
                        } else {
                            Err(InitError::Asset)
                        }
                    },
                    Option::None => Err(InitError::Asset),
                }
            }
        },
    }
}

} // verus!
