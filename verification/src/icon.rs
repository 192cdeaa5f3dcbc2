//! The window icon, decoded from the bundled PNG by the `image` crate.

use vstd::prelude::*;

verus! {

/// A decoded icon: RGBA pixels with eight bits a channel, row by row, and
/// the size in pixels.
pub struct IconImage {
    pub rgba: Vec<u8>,
    pub width: u32,
    pub height: u32,
}

/// Calls `image::load_from_memory` and, where it succeeds, converts the
/// picture to RGBA with eight bits a channel (`to_rgba8`) and takes its
/// pixels (`into_raw`) and size (`dimensions`).  The decoder allocates
/// the documented `total_bytes` (width × height × bytes per pixel) for a
/// picture and the conversion builds buffers of exactly that size, so
/// the pixels are four bytes for each of the width × height pixels.
/// Which picture comes out is not stated: `load_from_memory` consults
/// format-detection and decoding hooks that any code of the process may
/// register, so it is not a function of the bytes alone.
#[verifier::external_body]
fn decode_rgba8(bytes: &[u8]) -> (r: Option<(Vec<u8>, u32, u32)>)
    ensures
        r matches Some((px, w, h)) ==> px@.len() == 4 * w * h,
{
    match image::load_from_memory(bytes) {
        Ok(picture) => {
            let rgba = picture.to_rgba8();
            let (w, h) = rgba.dimensions();
            Some((rgba.into_raw(), w, h))
        },
        Err(_) => None,
    }
}

/// Decodes the window icon; `None` where the bytes are no image that the
/// decoder reads, so that a bad icon never stops the app from starting.
/// A decoded icon holds four bytes (red, green, blue, alpha) per pixel.
pub fn decode_icon(bytes: &[u8]) -> (r: Option<IconImage>)
    ensures
        r matches Some(icon) ==> icon.rgba@.len() == 4 * icon.width * icon.height,
{
    match decode_rgba8(bytes) {
        Some((rgba, width, height)) => Some(IconImage { rgba, width, height }),
        None => None,
    }
}

} // verus!
