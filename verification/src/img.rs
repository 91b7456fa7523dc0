//! Decoded images.
//!
//! `PixelImage` is an RGBA pixel buffer with explicit dimensions and
//! unmultiplied alpha, produced from arbitrary encoded bytes by `decode`.
//! The decoder itself is the `image` codec crate; what it yields for a given
//! byte sequence is named by the uninterpreted function `decoded_image`, and
//! everything downstream is verified against that name.

use vstd::prelude::*;

verus! {

/// The model of a decoded image: dimensions and the RGBA byte sequence.
pub struct PixelImageView {
    pub width: nat,
    pub height: nat,
    pub rgba: Seq<u8>,
}

impl PixelImageView {
    /// A well-formed image's buffer holds exactly four bytes per pixel.
    pub open spec fn wf(self) -> bool {
        &&& self.width <= u32::MAX
        &&& self.height <= u32::MAX
        &&& self.rgba.len() == self.width * self.height * 4
    }
}

/// A decoded RGBA raster: `rgba` holds `width * height * 4` bytes,
/// row-major, with unmultiplied alpha.
#[derive(Clone, Debug)]
pub struct PixelImage {
    pub width: u32,
    pub height: u32,
    pub rgba: Vec<u8>,
}

impl View for PixelImage {
    type V = PixelImageView;

    open spec fn view(&self) -> PixelImageView {
        PixelImageView {
            width: self.width as nat,
            height: self.height as nat,
            rgba: self.rgba@,
        }
    }
}

/// Decoding failed: the bytes were malformed or in an unsupported format.
#[derive(Clone, Debug)]
pub struct DecodeError {
    pub message: String,
}

/// What the codec yields for a byte sequence: `Some` well-formed image
/// exactly when the bytes are a valid encoded image, `None` otherwise.
/// The result depends on the bytes alone.
pub uninterp spec fn decoded_image(bytes: Seq<u8>) -> Option<PixelImageView>;

/// Relies on `image::load_from_memory` (format auto-detection and decoding,
/// a function of the bytes alone) and `DynamicImage::to_rgba8` /
/// `ImageBuffer::into_raw` (an RGBA8 buffer of `width * height * 4` bytes
/// with unmultiplied alpha).
#[verifier::external_body]
fn decode_raw(bytes: &[u8]) -> (r: Result<PixelImage, DecodeError>)
    ensures
        r is Ok <==> decoded_image(bytes@) is Some,
        r matches Ok(img) ==> img@ == decoded_image(bytes@).unwrap() && img@.wf(),
{
    match image::load_from_memory(bytes) {
        Ok(decoded) => {
            let buffer = decoded.to_rgba8();
            let width = buffer.width();
            let height = buffer.height();
            Ok(PixelImage { width, height, rgba: buffer.into_raw() })
        }
        Err(e) => Err(DecodeError { message: format!("{e}") }),
    }
}

/// Decodes arbitrary bytes into an RGBA pixel buffer, auto-detecting the
/// format; fails exactly on bytes that are not a valid encoded image.
pub fn decode(bytes: &[u8]) -> (r: Result<PixelImage, DecodeError>)
    ensures
        r is Ok <==> decoded_image(bytes@) is Some,
        r matches Ok(img) ==> img@ == decoded_image(bytes@).unwrap() && img@.wf(),
{
    decode_raw(bytes)
}

} // verus!
